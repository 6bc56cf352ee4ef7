//! An escrow engine: a client places funds in custody for a provider, the
//! provider marks the service delivered, and the client releases the payment
//! or disputes it and is refunded.
//!
//! The engine works on plain values. The ledger that holds the accounts
//! hands each operation the accounts it touches, and stores what the
//! operation leaves in them.

pub mod address;
pub mod codec;
pub mod context;
pub mod guard;
pub mod instructions;
pub mod laws;
pub mod pubkey;
pub mod registry;
pub mod state;

pub use context::{ClientAction, CreateEscrow, Custody, ProviderAction, Wallet};
pub use instructions::{complete_service, create_escrow, dispute, release_payment};
pub use pubkey::Pubkey;
pub use state::{EscrowAccount, EscrowError, EscrowStatus, Operation, MAX_SERVICE_TYPE_LEN};
