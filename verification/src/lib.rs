//! Authentication of signed transactions before they are admitted for execution.
//!
//! A transaction names its sender, carries a sequence number and is accompanied
//! by an authenticator: a scheme tag, a signature and, for schemes that need
//! one, a public key. The validator recomputes the signed message, verifies the
//! signature under the tagged scheme, binds the verified key to the declared
//! sender and compares the sequence number with the account state.
//!
//! - [`scheme`]: the closed set of signature schemes.
//! - [`crypto`]: the cryptographic primitives, called and not proved.
//! - [`registry`]: one verification routine per scheme.
//! - [`address`]: addresses and their derivation from public keys.
//! - [`codec`]: the wire form of an authenticator and the canonical message.
//! - [`state`]: a snapshot of account state and its read-only accessor.
//! - [`validator`]: the decision whether a transaction is admitted.
//! - [`laws`]: what holds of every validation.
//! - [`statedb`]: the commands of the tool that produces the account state.

pub mod address;
mod bytes;
pub mod codec;
pub mod crypto;
pub mod laws;
pub mod registry;
pub mod scheme;
pub mod state;
pub mod statedb;
pub mod validator;
