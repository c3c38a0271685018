//! A capacity-bounded ticket sale with escrowed proceeds.
//!
//! An administrator authorizes raffle creation, buyers purchase numbered
//! ticket slots with a fungible asset, and after the deadline (or a
//! sell-out) the administrator withdraws the collected proceeds.
//!
//! The host environment (account storage, the asset ledger, the clock and
//! the signature checks) stays outside this crate: every operation here is
//! a pure state transition on plain values, and each context struct carries
//! the facts that the host's oracles established (the current time, whether
//! a principal signed, whether it is the deployment authority).

pub mod entrants;
pub mod errors;
pub mod keys;
pub mod laws;
pub mod ops;
pub mod state;

pub use entrants::Entrants;
pub use errors::RaffleError;
pub use keys::Pubkey;
pub use ops::Buy;
pub use ops::Close;
pub use ops::InitAdmin;
pub use ops::Initialize;
pub use ops::SetAdmin;
pub use ops::buy;
pub use ops::close;
pub use ops::init_admin;
pub use ops::initialize;
pub use ops::set_admin;
pub use state::AdminSettings;
pub use state::Raffle;
