use vstd::prelude::*;
use crate::amount::{Amount, ATTOS_PER_TOKEN};
use crate::chipset::{
    chip_base, chip_base_for, chip_value, chips_match, floor_attos, format_units, units_text,
    MIN_CHIP_TOKENS,
};

verus! {

/// Bet limits, with chip values, labels and flags where the balance reaches the floor.
#[derive(Debug, Clone, Default)]
pub struct ChipSet {
    pub min_bet: Amount,
    pub max_bet: Amount,
    pub denominations: Option<[Amount; 5]>,
    pub denominations_str: Option<[String; 5]>,
    pub enabled: Option<[bool; 5]>,
}

/// A user's seat, balance and the chips derived from that balance.
#[derive(Debug, Clone, Default)]
pub struct Profile {
    pub seat: Option<u8>,
    pub balance: Amount,
    pub chipset: Option<ChipSet>,
}

/// The chip set that a balance gives.
pub open spec fn chipset_matches(balance: Amount, c: ChipSet) -> bool {
    &&& c.max_bet == balance
    &&& if balance.attos < floor_attos() {
        &&& c.min_bet.attos == 0
        &&& c.denominations is None
        &&& c.denominations_str is None
        &&& c.enabled is None
    } else {
        &&& c.min_bet.attos == chip_base(balance.attos as nat)
        &&& c.denominations is Some
        &&& c.denominations_str is Some
        &&& c.enabled is Some
        &&& chips_match(balance.attos as nat, c.denominations->0@, c.denominations_str->0@, c.enabled->0@)
    }
}

impl Profile {
    pub fn update_seat(&mut self, seat_id: u8)
        ensures
            final(self).seat == Some(seat_id),
            final(self).balance == old(self).balance,
            final(self).chipset == old(self).chipset,
    {
        self.seat = Some(seat_id);
    }

    pub fn remove_seat(&mut self)
        ensures
            final(self).seat is None,
            final(self).balance == old(self).balance,
            final(self).chipset == old(self).chipset,
    {
        self.seat = None;
    }

    pub fn update_balance(&mut self, amount: Amount)
        ensures
            final(self).balance == amount,
            final(self).seat == old(self).seat,
            final(self).chipset == old(self).chipset,
    {
        self.balance = amount;
    }

    /// Recomputes the chip set from the balance.
    pub fn calculate_chipset(&mut self)
        ensures
            final(self).seat == old(self).seat,
            final(self).balance == old(self).balance,
            final(self).chipset is Some,
            chipset_matches(old(self).balance, final(self).chipset->0),
    {
        let balance = self.balance;
        if balance.attos < MIN_CHIP_TOKENS * ATTOS_PER_TOKEN {
            self.chipset = Some(ChipSet {
                min_bet: Amount::zero(),
                max_bet: balance,
                denominations: None,
                denominations_str: None,
                enabled: None,
            });
            return;
        }
        let base = chip_base_for(balance);
        let one = Amount::one();
        let d0 = chip_value(base, 0);
        let d1 = chip_value(base, 1);
        let d2 = chip_value(base, 2);
        let d3 = chip_value(base, 3);
        let d4 = chip_value(base, 4);
        self.chipset = Some(ChipSet {
            min_bet: d0,
            max_bet: balance,
            denominations: Some([d0, d1, d2, d3, d4]),
            denominations_str: Some([
                format_chipset_units(d0.saturating_div(one)),
                format_chipset_units(d1.saturating_div(one)),
                format_chipset_units(d2.saturating_div(one)),
                format_chipset_units(d3.saturating_div(one)),
                format_chipset_units(d4.saturating_div(one)),
            ]),
            enabled: Some([
                d0.attos <= balance.attos,
                d1.attos <= balance.attos,
                d2.attos <= balance.attos,
                d3.attos <= balance.attos,
                d4.attos <= balance.attos,
            ]),
        });
    }

    pub fn clear_chipset(&mut self)
        ensures
            final(self).chipset is None,
            final(self).seat == old(self).seat,
            final(self).balance == old(self).balance,
    {
        self.chipset = None;
    }
}

/// Writes a whole number of tokens for a chip label (see `format_units`).
pub fn format_chipset_units(value: u128) -> (r: String)
    ensures
        r@ == units_text(value as nat),
{
    format_units(value)
}

} // verus!
