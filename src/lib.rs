//! A staking contract in its operational configuration, adapted for loading as a
//! plugin: a transparent wrapper that the contract is decoded through and then
//! unwrapped from, and the registration entry that announces it to a host.

mod registration;
mod wrapper;

pub use registration::{registration, Registration};
pub use wrapper::{
    lemma_decode_round_trip, lemma_failure_transparent, unwrap_decoded, unwrap_outcome,
    wrap_decoded, wrap_outcome, Wrapper,
};
