//! Hosting: the waitlist and the tables.

use vstd::prelude::*;

verus! {

/// Puts the customer on the waitlist. The restaurant keeps no list yet, so
/// there is nothing to do.
pub fn add_to_waitlist() {
}

/// Seats the customer at a table. The restaurant keeps no tables yet, so
/// there is nothing to do.
pub fn seat_at_table() {
}

} // verus!
