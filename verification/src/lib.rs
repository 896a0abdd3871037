//! A fixed-inventory ticket sale: a pair of mutually consistent counters
//! (`available_tickets`, `sold_tickets`) contested by many buyers, each
//! attempting exactly one purchase.
//!
//! The sequential core lives in [`inventory`]; [`simulation`] runs a whole
//! sale and pins down its aggregate outcome; [`booth`] shares one counter
//! pair between truly concurrent buyer threads behind a lock whose invariant
//! is the joint counter relation.

pub mod booth;
pub mod inventory;
pub mod simulation;
