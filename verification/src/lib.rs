//! Decision logic of an Espresso node: epoch membership catchup, the
//! marketplace solver's database options, and the fee bridge's checks.

pub mod options;
pub mod membership;
pub mod catchup;
pub mod registry;
pub mod amount;
pub mod bridge;
