//! A small restaurant, front of house and back of house.
//!
//! Nothing here writes anywhere: every function that has something to say to
//! the customer returns the lines of text, and the caller shows them.

use vstd::prelude::*;

pub mod back_of_house;
pub mod decimal;
pub mod front_of_house;

verus! {

/// Asks for a table: the customer is put on the waitlist and then seated.
pub fn ask_for_table() {
    front_of_house::hosting::add_to_waitlist();
    front_of_house::hosting::seat_at_table();
}

/// Delivers an order to the customer. The restaurant does not deliver yet,
/// so there is nothing to do.
pub fn deliver_order() {
}

/// A whole visit: the customer asks for a table, orders, is served the meal
/// of the house, and pays. Returns everything the customer is told, line by
/// line.
pub fn eat_at_restaurant() -> (lines: Vec<String>)
    ensures
        lines.deep_view() == seq![
            "Here's your meal, dear customer:"@,
            "Some whole wheat toast with seasonal fruits"@,
            "Thank you for your service!"@,
        ],
{
    ask_for_table();
    let mut lines = front_of_house::serving::take_order();
    assert(lines.deep_view().len() == 2);
    lines.push(front_of_house::serving::take_payment());
    lines
}

} // verus!
