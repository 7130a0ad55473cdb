//! The linear bond valuation engine and its derived buy/sell quotes.
//!
//! A bond issued at `start_time` with a given `duration` is worth zero at
//! issuance and its full `principal` from maturity on; in between its value
//! grows linearly with elapsed time.  The buy quote subtracts a discount
//! rounded down, the sell quote adds a premium rounded up, so rounding can
//! only widen the spread, never narrow it.

use crate::utils::floor_quotient;
use crate::utils::mul_div_down;
use crate::utils::mul_div_down_spec;
use crate::utils::mul_div_up;
use crate::utils::mul_div_up_spec;
use vstd::arithmetic::div_mod::lemma_div_is_ordered;
use vstd::arithmetic::div_mod::lemma_div_multiples_vanish;
use vstd::arithmetic::div_mod::lemma_div_pos_is_pos;
use vstd::arithmetic::mul::lemma_mul_inequality;
use vstd::arithmetic::mul::lemma_mul_is_commutative;
use vstd::arithmetic::mul::lemma_mul_nonnegative;
use vstd::prelude::*;

verus! {

/// One hundred percent in pips: a percentage is stored as an integer
/// multiple of 0.0001%, so 1,000,000 stands for 100%.
pub const SCALE_100: u64 = 1_000_000;

/// The bond's current value: `principal` once matured, otherwise
/// `principal` minus the still-undecayed share of it, clamped at zero.
pub open spec fn bond_value_spec(
    principal: int,
    start_time: int,
    duration: int,
    current_time: int,
) -> int {
    let end_time = start_time + duration;
    if current_time >= end_time {
        principal
    } else {
        let remaining_duration = end_time - current_time;
        let discount = mul_div_down_spec(principal, remaining_duration, duration);
        if principal > discount {
            principal - discount
        } else {
            0
        }
    }
}

/// The buy quote: the current value minus the bid discount, rounded down
/// and clamped at zero.
pub open spec fn buy_price_spec(
    principal: int,
    start_time: int,
    duration: int,
    current_time: int,
    bid_discount: int,
) -> int {
    let current_value = bond_value_spec(principal, start_time, duration, current_time);
    let discount = mul_div_down_spec(current_value, bid_discount, SCALE_100 as int);
    if current_value > discount {
        current_value - discount
    } else {
        0
    }
}

/// The sell quote: the current value plus the ask premium, rounded up and
/// saturated to the 64-bit maximum.
pub open spec fn sell_price_spec(
    principal: int,
    start_time: int,
    duration: int,
    current_time: int,
    ask_premium: int,
) -> int {
    let current_value = bond_value_spec(principal, start_time, duration, current_time);
    let premium = mul_div_up_spec(current_value, ask_premium, SCALE_100 as int);
    if current_value + premium > u64::MAX {
        u64::MAX as int
    } else {
        current_value + premium
    }
}

/// Holds when a query's time parameters are within the caller's contract:
/// the maturity instant fits the integer width, and a pre-maturity query
/// never carries a zero duration (which would divide by zero).
pub open spec fn valid_query(start_time: int, duration: int, current_time: int) -> bool {
    &&& start_time + duration <= u64::MAX
    &&& (current_time < start_time + duration ==> duration > 0)
}

/// The pricing configuration: two independent percentages in pips, set at
/// construction.  Neither is bounded by 100%; the arithmetic saturates
/// rather than overflow for any stored value.
pub struct LinearBondPricing {
    pub bid_discount: u64,
    pub ask_premium: u64,
}

impl LinearBondPricing {
    /// A configuration with both percentages at zero, to be filled in by
    /// `constructor`.
    pub fn new() -> (r: Self)
        ensures
            r.bid_discount == 0,
            r.ask_premium == 0,
    {
        LinearBondPricing { bid_discount: 0, ask_premium: 0 }
    }

    /// Sets the bid discount and ask premium.
    pub fn constructor(&mut self, bid_discount: u64, ask_premium: u64)
        ensures
            final(self).bid_discount == bid_discount,
            final(self).ask_premium == ask_premium,
    {
        self.bid_discount = bid_discount;
        self.ask_premium = ask_premium;
    }

    /// The stored bid discount.
    pub fn bid_discount(&self) -> (r: u64)
        ensures
            r == self.bid_discount,
    {
        self.bid_discount
    }

    /// The stored ask premium.
    pub fn ask_premium(&self) -> (r: u64)
        ensures
            r == self.ask_premium,
    {
        self.ask_premium
    }

    /// The price at which the pool would buy a bond: the current value
    /// less the bid discount, rounded down so that the discount is never
    /// overstated.
    pub fn get_buy_price(
        &self,
        principal: u64,
        start_time: u64,
        duration: u64,
        current_time: u64,
        _reference_id: Vec<u8>,
    ) -> (price: u64)
        requires
            valid_query(start_time as int, duration as int, current_time as int),
        ensures
            price == buy_price_spec(
                principal as int,
                start_time as int,
                duration as int,
                current_time as int,
                self.bid_discount as int,
            ),
    {
        let current_value = self.calculate_current_bond_value(
            principal,
            start_time,
            duration,
            current_time,
        );
        let discount = mul_div_down(current_value, self.bid_discount, SCALE_100);

        if current_value > discount {
            current_value - discount
        } else {
            0
        }
    }

    /// The price at which the pool would sell a bond: the current value
    /// plus the ask premium, rounded up so that truncation never
    /// undercharges, and saturated at the 64-bit maximum.
    pub fn get_sell_price(
        &self,
        principal: u64,
        start_time: u64,
        duration: u64,
        current_time: u64,
        _reference_id: Vec<u8>,
    ) -> (price: u64)
        requires
            valid_query(start_time as int, duration as int, current_time as int),
        ensures
            price == sell_price_spec(
                principal as int,
                start_time as int,
                duration as int,
                current_time as int,
                self.ask_premium as int,
            ),
    {
        let current_value = self.calculate_current_bond_value(
            principal,
            start_time,
            duration,
            current_time,
        );
        let premium = mul_div_up(current_value, self.ask_premium, SCALE_100);

        match current_value.checked_add(premium) {
            Some(price) => price,
            None => u64::MAX,
        }
    }

    /// The current value of a bond under the linear decay model: the full
    /// principal once matured, otherwise the principal less the share
    /// still to be earned, clamped at zero.
    pub fn calculate_current_bond_value(
        &self,
        principal: u64,
        start_time: u64,
        duration: u64,
        current_time: u64,
    ) -> (value: u64)
        requires
            valid_query(start_time as int, duration as int, current_time as int),
        ensures
            value == bond_value_spec(
                principal as int,
                start_time as int,
                duration as int,
                current_time as int,
            ),
    {
        let end_time = start_time + duration;

        if current_time >= end_time {
            return principal;
        }

        let remaining_duration = end_time - current_time;
        let discount = mul_div_down(principal, remaining_duration, duration);

        if principal > discount {
            principal - discount
        } else {
            0
        }
    }
}

/// The bond's value never leaves the range from zero to its principal.
pub proof fn lemma_bond_value_bounds(
    principal: u64,
    start_time: u64,
    duration: u64,
    current_time: u64,
)
    requires
        current_time < start_time + duration ==> duration > 0,
    ensures
        0 <= bond_value_spec(
            principal as int,
            start_time as int,
            duration as int,
            current_time as int,
        ) <= principal,
{
    let end_time = start_time + duration;
    if current_time < end_time {
        let remaining_duration = end_time - current_time;
        lemma_mul_nonnegative(principal as int, remaining_duration);
        lemma_div_pos_is_pos(principal * remaining_duration, duration as int);
    }
}

/// Maturity boundary: from the instant the bond matures on, its value is
/// the full principal.
pub proof fn lemma_value_at_maturity(principal: u64, start_time: u64, duration: u64)
    requires
        duration > 0,
    ensures
        bond_value_spec(
            principal as int,
            start_time as int,
            duration as int,
            start_time + duration,
        ) == principal,
{
}

/// Issuance boundary: the bond is worth nothing at its start time, the
/// beginning of the linear decay.
pub proof fn lemma_value_at_issuance(principal: u64, start_time: u64, duration: u64)
    requires
        duration > 0,
    ensures
        bond_value_spec(
            principal as int,
            start_time as int,
            duration as int,
            start_time as int,
        ) == 0,
{
    let p = principal as int;
    let d = duration as int;
    lemma_mul_is_commutative(p, d);
    lemma_div_multiples_vanish(p, d);
}

/// Midpoint: halfway through an even duration the bond is worth its
/// principal less the floored half share.  Odd durations are excluded:
/// there the remaining time is one more than `duration / 2`.
pub proof fn lemma_value_at_midpoint(principal: u64, start_time: u64, duration: u64)
    requires
        duration > 0,
        duration % 2 == 0,
    ensures
        bond_value_spec(
            principal as int,
            start_time as int,
            duration as int,
            start_time + duration / 2,
        ) == principal - floor_quotient(principal as int, duration as int / 2, duration as int),
{
    let p = principal as int;
    let d = duration as int;
    let half = d / 2;
    lemma_mul_nonnegative(p, half);
    lemma_div_pos_is_pos(p * half, d);
    lemma_mul_is_commutative(p, half);
    lemma_mul_is_commutative(p, d);
    lemma_mul_inequality(half, d, p);
    lemma_div_is_ordered(p * half, p * d, d);
    lemma_div_multiples_vanish(p, d);
}

/// Monotonicity: as time passes the bond's value never decreases, up to
/// the full principal at maturity and constant from then on.
pub proof fn lemma_value_monotonic(
    principal: u64,
    start_time: u64,
    duration: u64,
    earlier_time: u64,
    later_time: u64,
)
    requires
        earlier_time <= later_time,
        earlier_time < start_time + duration ==> duration > 0,
    ensures
        bond_value_spec(
            principal as int,
            start_time as int,
            duration as int,
            earlier_time as int,
        ) <= bond_value_spec(
            principal as int,
            start_time as int,
            duration as int,
            later_time as int,
        ),
{
    let p = principal as int;
    let d = duration as int;
    let end_time = start_time + d;
    lemma_bond_value_bounds(principal, start_time, duration, earlier_time);
    if later_time < end_time {
        let remaining_earlier = end_time - earlier_time;
        let remaining_later = end_time - later_time;
        lemma_mul_nonnegative(p, remaining_later);
        lemma_div_pos_is_pos(p * remaining_later, d);
        lemma_mul_is_commutative(p, remaining_earlier);
        lemma_mul_is_commutative(p, remaining_later);
        lemma_mul_inequality(remaining_later, remaining_earlier, p);
        lemma_div_is_ordered(p * remaining_later, p * remaining_earlier, d);
    }
}

/// Spread ordering: the buy price never exceeds the current value, and the
/// sell price is never below it, whatever discount and premium are stored.
pub proof fn lemma_buy_value_sell_order(
    principal: u64,
    start_time: u64,
    duration: u64,
    current_time: u64,
    bid_discount: u64,
    ask_premium: u64,
)
    requires
        current_time < start_time + duration ==> duration > 0,
    ensures
        buy_price_spec(
            principal as int,
            start_time as int,
            duration as int,
            current_time as int,
            bid_discount as int,
        ) <= bond_value_spec(
            principal as int,
            start_time as int,
            duration as int,
            current_time as int,
        ),
        bond_value_spec(
            principal as int,
            start_time as int,
            duration as int,
            current_time as int,
        ) <= sell_price_spec(
            principal as int,
            start_time as int,
            duration as int,
            current_time as int,
            ask_premium as int,
        ),
{
    let value = bond_value_spec(
        principal as int,
        start_time as int,
        duration as int,
        current_time as int,
    );
    lemma_bond_value_bounds(principal, start_time, duration, current_time);
    lemma_mul_nonnegative(value, bid_discount as int);
    lemma_div_pos_is_pos(value * (bid_discount as int), SCALE_100 as int);
    lemma_mul_nonnegative(value, ask_premium as int);
    lemma_div_pos_is_pos(value * (ask_premium as int), SCALE_100 as int);
}

} // verus!
