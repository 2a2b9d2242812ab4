use vstd::prelude::*;
use crate::amount::{Amount, ATTOS_PER_TOKEN};
use crate::chipset::{
    chip_base, chip_base_for, chip_value, denomination, floor_attos, format_units, units_text,
    MIN_CHIP_TOKENS,
};

verus! {

/// One chip: its value, its label and whether the balance covers it.
#[derive(Debug, Clone, Default)]
pub struct Chip {
    pub amount: Amount,
    pub text: String,
    pub enable: bool,
}

/// Bet limits, with chips where the balance reaches the floor.
#[derive(Debug, Clone, Default)]
pub struct BetData {
    pub min_bet: Amount,
    pub max_bet: Amount,
    pub chipset: Option<[Chip; 5]>,
}

/// A user's seat, balance and the bet limits derived from that balance.
#[derive(Debug, Clone, Default)]
pub struct Profile {
    pub seat: Option<u8>,
    pub balance: Amount,
    pub bet_data: Option<BetData>,
}

/// Chip `k` for a balance at or above the floor.
pub open spec fn chip_matches(balance: nat, chip: Chip, k: int) -> bool {
    &&& chip.amount.attos == denomination(chip_base(balance), k)
    &&& chip.text@ == units_text(denomination(chip_base(balance), k) / (ATTOS_PER_TOKEN as nat))
    &&& chip.enable == (denomination(chip_base(balance), k) <= balance)
}

/// The bet data that a balance gives.
pub open spec fn bet_data_matches(balance: Amount, d: BetData) -> bool {
    &&& d.max_bet == balance
    &&& if balance.attos < floor_attos() {
        d.min_bet.attos == 0 && d.chipset is None
    } else {
        &&& d.min_bet.attos == chip_base(balance.attos as nat)
        &&& d.chipset is Some
        &&& forall|k: int| 0 <= k < 5 ==> chip_matches(balance.attos as nat, #[trigger] d.chipset->0@[k], k)
    }
}

fn make_chip(base: Amount, k: usize, balance: Amount) -> (c: Chip)
    requires
        k < 5,
        balance.attos >= floor_attos(),
        base.attos == chip_base(balance.attos as nat),
    ensures
        chip_matches(balance.attos as nat, c, k as int),
{
    let amount = chip_value(base, k);
    Chip { amount, text: format_chip_units(amount.saturating_div(Amount::one())), enable: amount.attos <= balance.attos }
}

impl Profile {
    pub fn update_seat(&mut self, seat_id: u8)
        ensures
            final(self).seat == Some(seat_id),
            final(self).balance == old(self).balance,
            final(self).bet_data == old(self).bet_data,
    {
        self.seat = Some(seat_id);
    }

    pub fn remove_seat(&mut self)
        ensures
            final(self).seat is None,
            final(self).balance == old(self).balance,
            final(self).bet_data == old(self).bet_data,
    {
        self.seat = None;
    }

    pub fn update_balance(&mut self, amount: Amount)
        ensures
            final(self).balance == amount,
            final(self).seat == old(self).seat,
            final(self).bet_data == old(self).bet_data,
    {
        self.balance = amount;
    }

    /// Recomputes the bet limits and chips from the balance.
    pub fn calculate_bet_data(&mut self)
        ensures
            final(self).seat == old(self).seat,
            final(self).balance == old(self).balance,
            final(self).bet_data is Some,
            bet_data_matches(old(self).balance, final(self).bet_data->0),
    {
        let balance = self.balance;
        if balance.attos < MIN_CHIP_TOKENS * crate::amount::ATTOS_PER_TOKEN {
            self.bet_data = Some(BetData { min_bet: Amount::zero(), max_bet: balance, chipset: None });
            return;
        }
        let base = chip_base_for(balance);
        let c0 = make_chip(base, 0, balance);
        let c1 = make_chip(base, 1, balance);
        let c2 = make_chip(base, 2, balance);
        let c3 = make_chip(base, 3, balance);
        let c4 = make_chip(base, 4, balance);
        let min_bet = chip_value(base, 0);
        let chips = [c0, c1, c2, c3, c4];
        assert(forall|k: int| 0 <= k < 5 ==> chip_matches(balance.attos as nat, #[trigger] chips@[k], k));
        self.bet_data = Some(BetData { min_bet, max_bet: balance, chipset: Some(chips) });
    }

    pub fn clear_bet_data(&mut self)
        ensures
            final(self).bet_data is None,
            final(self).seat == old(self).seat,
            final(self).balance == old(self).balance,
    {
        self.bet_data = None;
    }
}

/// Writes a whole number of tokens for a chip label (see `format_units`).
pub fn format_chip_units(value: u128) -> (r: String)
    ensures
        r@ == units_text(value as nat),
{
    format_units(value)
}

} // verus!
