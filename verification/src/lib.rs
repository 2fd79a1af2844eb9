//! Cliff-and-linear vesting of equity grants.
//!
//! A [`grant::Grant`] vests nothing before its cliff, a fixed share of its
//! amount at the cliff, and the rest in equal monthly parts until its length
//! has passed. Amounts are exact rationals; a schedule floors them to whole
//! units at each monthly checkpoint.

pub mod date;
pub mod grant;
pub mod laws;
pub mod rational;
pub mod schedule;
