//! Linear bond pricing.
//!
//! A bond's value decays linearly from zero at issuance to its full
//! principal at maturity.  Buy and sell quotes are derived from that value
//! by applying a stored discount or premium percentage, with the rounding
//! direction chosen per side so that truncation never narrows the spread.

pub mod pricing;
pub mod utils;
