//! Transfer-time access control for a token.
//!
//! Every transfer is intercepted and validated: the source account's binary
//! extension region must carry a "currently transferring" flag, and the
//! destination must be a member of a mutable whitelist of permitted
//! accounts. An authority-gated administrative operation grows the
//! whitelist; a one-time initializer creates the whitelist record and
//! publishes the auxiliary account metadata a transfer caller needs to
//! resolve the whitelist on its own.

pub mod error;
pub mod extension;
pub mod hook;
pub mod meta_list;
pub mod pubkey;
pub mod whitelist;
