use vstd::prelude::*;
use crate::bankroll::DebtStatus;
use crate::blackjack::BlackjackStatus;
use crate::chain::GameError;
use crate::player_dealer::Player;
use crate::blackjack::UserStatus;
use crate::amount::Amount;
use crate::bankroll::DebtRecord;
use crate::blackjack::GameOutcome;
use crate::chain::ChainId;
use crate::operations::deal_bet_post;
use crate::protocol::{find_result_post, hit_step, seat_granted, seat_request_post, valid_table_seat};
use crate::state::BlackjackMessage;
use crate::table::{seated_player, settled};
use crate::state::{BlackjackChain, Outbound};
use crate::table::{paid_out, payout_debt, payout_pool};

verus! {

/// Any run of successful Hits moves the round's sequence number strictly
/// forward (while it has room to grow), and after each Hit the round is at the
/// player's turn or has ended.
pub proof fn lemma_hits_advance(states: Seq<BlackjackChain>)
    requires
        states.len() >= 1,
        forall|i: int| 0 <= i < states.len() - 1 ==> #[trigger] hit_step(&states[i], &states[i + 1]),
        states[0].single_player_game.sequence + states.len() <= u64::MAX,
    ensures
        forall|i: int, j: int| 0 <= i < j < states.len()
            ==> states[i].single_player_game.sequence < states[j].single_player_game.sequence,
        forall|i: int| 0 < i < states.len() ==> {
            ||| states[i].single_player_game.status == BlackjackStatus::PlayerTurn
            ||| states[i].single_player_game.status == BlackjackStatus::RoundEnded
        },
{
    let s0 = states[0].single_player_game.sequence as int;
    assert forall|i: int| 0 <= i < states.len() implies #[trigger] states[i].single_player_game.sequence == s0 + i by {
        lemma_sequence_at(states, i);
    }
    assert forall|i: int| 0 < i < states.len() implies {
        ||| states[i].single_player_game.status == BlackjackStatus::PlayerTurn
        ||| states[i].single_player_game.status == BlackjackStatus::RoundEnded
    } by {
        let k = i - 1;
        assert(hit_step(&states[k], &states[k + 1]));
        assert(states[k + 1] == states[i]);
    }
}

proof fn lemma_sequence_at(states: Seq<BlackjackChain>, i: int)
    requires
        0 <= i < states.len(),
        forall|k: int| 0 <= k < states.len() - 1 ==> #[trigger] hit_step(&states[k], &states[k + 1]),
        states[0].single_player_game.sequence + states.len() <= u64::MAX,
    ensures
        states[i].single_player_game.sequence == states[0].single_player_game.sequence + i,
    decreases i,
{
    if i > 0 {
        lemma_sequence_at(states, i - 1);
        let k = i - 1;
        assert(hit_step(&states[k], &states[k + 1]));
        assert(states[k + 1] == states[i]);
    }
}

/// Paying a player out of the pool creates no tokens: the player's balance and
/// the pool together grow by exactly the debt recorded against the pool chain,
/// which is nothing where the pool covers the payout.
pub proof fn lemma_payout_conserves(
    s: BlackjackChain,
    t: BlackjackChain,
    owed: nat,
    now: u64,
    r: Result<Vec<Outbound>, GameError>,
)
    requires
        paid_out(&s, &t, owed, now, r),
        r is Ok,
        s.profile.balance.attos + owed <= u128::MAX,
    ensures
        t.profile.balance.attos + t.blackjack_token_pool.attos
            == s.profile.balance.attos + s.blackjack_token_pool.attos + payout_debt(s.blackjack_token_pool.attos as nat, owed),
        s.blackjack_token_pool.attos >= owed ==> t.bankroll.debt_log@ == s.bankroll.debt_log@,
        s.blackjack_token_pool.attos < owed ==> t.bankroll.debt_log@.contains_key(now)
            && t.bankroll.debt_log@[now].amount.attos == payout_debt(s.blackjack_token_pool.attos as nat, owed)
            && t.bankroll.debt_log@[now].status == DebtStatus::Pending,
{
}

/// One step of the token flows between a user chain and its pool chain, over the
/// totals (minted, the players' balances, the user chain's pool, the pool
/// chain's pool, pending debt). The steps are those of the library: kind 0 is the
/// bet that `deal_draw_single_player` locks in, kind 1 a payout by
/// `pay_single_player` (see `settled`), kind 2 the pool that `handle_player_bust`
/// hands on and `BankrollState::token_pot` receives, kind 3 a debt that
/// `BankrollState::debt_notif` pays, and kind 4 tokens that
/// `BankrollState::received_token` receives after `mint_token`. The lemmas
/// `lemma_settlement_is_ledger_step` and `lemma_bet_is_ledger_step` tie kinds 0
/// to 2 to those functions' contracts.
pub open spec fn ledger_apply(a: (nat, nat, nat, nat, nat), kind: nat, x: nat) -> (nat, nat, nat, nat, nat) {
    let (minted, balances, pool, master, pending) = a;
    if kind == 0 {
        // a bet of `x` moves from the balance into the pool
        if x <= balances { (minted, (balances - x) as nat, pool + x, master, pending) } else { a }
    } else if kind == 1 {
        // `x` is paid out of the pool, the shortfall becoming debt
        (minted, balances + x, payout_pool(pool, x), master, pending + payout_debt(pool, x))
    } else if kind == 2 {
        // a lost round hands the pool to the pool chain
        (minted, balances, 0, master + pool, pending)
    } else if kind == 3 {
        // the pool chain pays `x` of pending debt
        if x <= master && x <= pending { (minted, balances, pool, (master - x) as nat, (pending - x) as nat) } else { a }
    } else {
        // `x` new tokens are minted into the pool chain's pool
        (minted + x, balances, pool, master + x, pending)
    }
}

/// The totals after a run of (kind, amount) steps.
pub open spec fn ledger_run(a: (nat, nat, nat, nat, nat), steps: Seq<(nat, nat)>) -> (nat, nat, nat, nat, nat)
    decreases steps.len(),
{
    if steps.len() == 0 {
        a
    } else {
        ledger_apply(ledger_run(a, steps.drop_last()), steps.last().0, steps.last().1)
    }
}

/// Whether every payout of a run is covered by the pool it is paid from.
pub open spec fn payouts_covered(a: (nat, nat, nat, nat, nat), steps: Seq<(nat, nat)>) -> bool
    decreases steps.len(),
{
    steps.len() == 0 || (payouts_covered(a, steps.drop_last()) && (steps.last().0 == 1
        ==> steps.last().1 <= ledger_run(a, steps.drop_last()).2))
}

/// Over any run of bets, payouts, lost rounds, debt payments and mints, the
/// tokens minted plus the debt still pending equal what the balances and the
/// two pools hold.
pub proof fn lemma_ledger_balanced(a: (nat, nat, nat, nat, nat), steps: Seq<(nat, nat)>)
    requires
        a.0 + a.4 == a.1 + a.2 + a.3,
    ensures
        ({
            let b = ledger_run(a, steps);
            b.0 + b.4 == b.1 + b.2 + b.3
        }),
    decreases steps.len(),
{
    if steps.len() > 0 {
        lemma_ledger_balanced(a, steps.drop_last());
    }
}

/// Where every payout is covered by the pool, the tokens minted equal what the
/// balances and the two pools hold plus the pending debt, after any run.
pub proof fn lemma_ledger_total(a: (nat, nat, nat, nat, nat), steps: Seq<(nat, nat)>)
    requires
        a.0 == a.1 + a.2 + a.3 + a.4,
        a.4 == 0,
        payouts_covered(a, steps),
    ensures
        ({
            let b = ledger_run(a, steps);
            &&& b.0 == b.1 + b.2 + b.3 + b.4
            &&& b.4 == 0
        }),
    decreases steps.len(),
{
    if steps.len() > 0 {
        lemma_ledger_total(a, steps.drop_last());
    }
}

/// A seat maps to one player at most: a taken seat is refused, and once it is
/// vacated the same seat is granted again.
pub proof fn lemma_seat_reuse(players: Map<u8, Player>, seat_id: u8)
    requires
        1 <= seat_id <= crate::blackjack::MAX_BLACKJACK_PLAYERS,
    ensures
        players.contains_key(seat_id) ==> !seat_granted(players, seat_id),
        seat_granted(players.remove(seat_id), seat_id),
{
}


/// Where no public chain ever finds a play chain, a search started afresh is
/// retried exactly three times; the fourth empty answer makes the play chain
/// unavailable and resets the retry count.
pub proof fn lemma_discovery_gives_up(states: Seq<BlackjackChain>, results: Seq<Result<Vec<Outbound>, GameError>>)
    requires
        states.len() == 5,
        results.len() == 4,
        states[0].find_play_chain_retry == 0,
        states[0].user_status == UserStatus::FindPlayChain,
        forall|i: int| 0 <= i < 4 ==> #[trigger] find_result_post(&states[i], &states[i + 1], None, results[i]) && results[i] is Ok,
    ensures
        forall|i: int| 1 <= i <= 3 ==> #[trigger] states[i].find_play_chain_retry == i
            && states[i].user_status == UserStatus::FindPlayChain,
        states[4].user_status == UserStatus::PlayChainUnavailable,
        states[4].find_play_chain_retry == 0,
        states[4].user_play_chain is None,
{
    let k0: int = 0;
    let k1: int = 1;
    let k2: int = 2;
    let k3: int = 3;
    assert(find_result_post(&states[k0], &states[k0 + 1], None, results[k0]));
    assert(find_result_post(&states[k1], &states[k1 + 1], None, results[k1]));
    assert(find_result_post(&states[k2], &states[k2 + 1], None, results[k2]));
    assert(find_result_post(&states[k3], &states[k3 + 1], None, results[k3]));
}


/// The end of a round moves tokens as the ledger model says: a loss is a step of
/// kind 2 (the pool handed to the pool chain), a win or a draw a step of kind 1
/// (a payout of twice the bet, or the bet, with its shortfall as pending debt).
pub proof fn lemma_settlement_is_ledger_step(
    s: BlackjackChain,
    t: BlackjackChain,
    outcome: GameOutcome,
    bet: nat,
    balance: nat,
    pool: nat,
    accounts: Map<u64, Amount>,
    debts: Map<u64, DebtRecord>,
    now: u64,
    r: Result<Vec<Outbound>, GameError>,
    minted: nat,
    master: nat,
    pending: nat,
)
    requires
        settled(&s, &t, outcome, bet, balance, pool, accounts, debts, now, r),
        outcome != GameOutcome::Continue,
        balance + 2 * bet <= u128::MAX,
        2 * bet <= u128::MAX,
    ensures
        outcome == GameOutcome::DealerWins ==> ledger_apply((minted, balance, pool, master, pending), 2, 0)
            == (minted, t.profile.balance.attos as nat, t.blackjack_token_pool.attos as nat, master + pool, pending),
        outcome != GameOutcome::DealerWins ==> ({
            let owed = if outcome == GameOutcome::PlayerWins { 2 * bet } else { bet };
            ledger_apply((minted, balance, pool, master, pending), 1, owed)
                == (minted, t.profile.balance.attos as nat, t.blackjack_token_pool.attos as nat, master, pending + payout_debt(pool, owed))
        }),
{
}

/// Locking in a bet at the deal is a step of kind 0 of the ledger model: the bet
/// leaves the balance and enters the pool (where the round goes on, so that no
/// settlement follows at once).
pub proof fn lemma_bet_is_ledger_step(s: BlackjackChain, t: BlackjackChain, now: u64, r: Result<Vec<Outbound>, GameError>, minted: nat, master: nat, pending: nat)
    requires
        deal_bet_post(&s, &t, now, r),
        r is Ok,
        t.single_player_game.status == BlackjackStatus::PlayerTurn,
        seated_player(&t).bet.attos <= seated_player(&s).balance.attos,
        seated_player(&s).balance == s.profile.balance,
        s.blackjack_token_pool.attos + seated_player(&t).bet.attos <= u128::MAX,
    ensures
        ledger_apply((minted, s.profile.balance.attos as nat, s.blackjack_token_pool.attos as nat, master, pending), 0, seated_player(&t).bet.attos as nat)
            == (minted, t.profile.balance.attos as nat, t.blackjack_token_pool.attos as nat, master, pending),
{
}

/// A seat that was vacated is granted to the next request for it: the requester
/// gets a fresh record there, every other seat keeps its player, and the
/// requester is told so.
pub proof fn lemma_vacated_seat_granted(
    before: Map<u8, Player>,
    s: BlackjackChain,
    t: BlackjackChain,
    seat_id: u8,
    balance: Amount,
    origin: ChainId,
    r: Seq<Outbound>,
)
    requires
        valid_table_seat(seat_id),
        s.game.players@ == before.remove(seat_id),
        seat_request_post(&s, &t, seat_id, balance, origin, r),
    ensures
        t.game.players@.contains_key(seat_id),
        t.game.players@[seat_id].balance == balance,
        t.game.players@[seat_id].chain_id == Some(origin),
        t.game.players@[seat_id].bet.attos == 0,
        t.game.players@[seat_id].seat_id == seat_id,
        t.game.players@[seat_id].hand@ == Seq::<u8>::empty(),
        !t.game.players@[seat_id].current_player,
        forall|k: u8| k != seat_id ==> (#[trigger] t.game.players@.contains_key(k) <==> before.contains_key(k))
            && (before.contains_key(k) ==> t.game.players@[k] == before[k]),
        r[0] == (Outbound::Send {
            destination: origin,
            message: BlackjackMessage::RequestTableSeatResult { seat_id, success: true },
        }),
{
    assert(seat_granted(s.game.players@, seat_id));
}

/// A request for a taken seat leaves the table as it was and is refused.
pub proof fn lemma_taken_seat_refused(s: BlackjackChain, t: BlackjackChain, seat_id: u8, balance: Amount, origin: ChainId, r: Seq<Outbound>)
    requires
        s.game.players@.contains_key(seat_id),
        seat_request_post(&s, &t, seat_id, balance, origin, r),
    ensures
        t.game.players@ == s.game.players@,
        r == seq![Outbound::Send {
            destination: origin,
            message: BlackjackMessage::RequestTableSeatResult { seat_id, success: false },
        }],
{
}
} // verus!
