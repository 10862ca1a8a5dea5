//! The front of house: everything that directly concerns the customer.

pub mod hosting;
pub mod serving;
