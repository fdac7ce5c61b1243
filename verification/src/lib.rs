//! Accounting and access-control core of a decentralized cold-storage
//! network: a custodial balance ledger with a hard-capped issuance
//! invariant, a bidirectional permission registry for the `File` and
//! `Billing` delegation roles, aggregate file counters, and a directory
//! of storage gateway nodes.
//!
//! The surrounding consensus host (caller authentication, transaction
//! ordering, persistent storage, event delivery) is an external
//! collaborator: it resolves each call to an authenticated [`Principal`]
//! and applies exactly one operation at a time to the [`Pallet`] state.
//! Every operation validates its preconditions before mutating anything,
//! so a rejected call leaves the state untouched.

pub mod auth;
pub mod catalog;
pub mod directory;
pub mod ledger;
pub mod pallet;
pub mod registry;
pub mod store;
pub mod types;

pub use pallet::GenesisConfig;
pub use pallet::Pallet;
pub use registry::PermissionRegistry;

pub use types::Error;
pub use types::Event;
pub use types::Gateway;
pub use types::Principal;
