//! Premium calculation: five percent of the ticket price, rounded down.

use vstd::prelude::*;

verus! {

/// The premium owed for a ticket price: `floor(ticket_price * 5 / 100)`.
/// Integer division truncates; the result never exceeds the ticket price.
pub open spec fn premium_of(ticket_price: u64) -> u64 {
    ((ticket_price * 5) / 100) as u64
}

/// The five-percent premium fits in the ticket price's own type.
pub proof fn lemma_premium_bounds(ticket_price: u64)
    ensures
        premium_of(ticket_price) as int == (ticket_price as int) * 5 / 100,
        premium_of(ticket_price) <= ticket_price,
{
    let p = ticket_price as int;
    vstd::arithmetic::div_mod::lemma_div_is_ordered(p * 5, p * 100, 100);
    vstd::arithmetic::div_mod::lemma_div_multiples_vanish(p, 100);
}

/// Computes `floor(ticket_price * 5 / 100)`. The multiplication is
/// carried out in a wider type first, so the quote is exact over the
/// whole range of the input.
pub fn compute_premium(ticket_price: u64) -> (r: u64)
    ensures
        r == premium_of(ticket_price),
        r as int == (ticket_price as int) * 5 / 100,
        r <= ticket_price,
{
    proof {
        lemma_premium_bounds(ticket_price);
    }
    let wide: u128 = (ticket_price as u128) * 5;
    (wide / 100) as u64
}

} // verus!
