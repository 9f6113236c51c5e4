//! Error codes of the CraftNexus escrow contract: their stable numbering,
//! decoding from a code, grouping into categories and retry classification;
//! and the escrow platform state with the decisions each call takes.

pub mod error;
pub mod governance;
pub mod metadata;
pub mod platform;
pub mod recurring;
pub mod refund;
pub mod staking;

pub use error::{is_retryable, Error, ErrorCategory, ERROR_CODE_COUNT};
pub use platform::{Escrow, EscrowStatus, Payout, Platform, PlatformConfig, TokenTransfer};
pub use refund::RefundPayout;
