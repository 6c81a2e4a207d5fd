//! A verified counter state machine.
//!
//! The library decodes a tagged binary instruction from a byte buffer,
//! applies one of four deterministic operations to a persisted 32-bit
//! counter, and re-encodes the updated state. Decoding, the transition
//! rules (saturating addition, clamp-to-zero subtraction) and the state
//! codec are all specified and proved here; a host supplies the byte
//! regions and persists the result.

pub mod error;
pub mod instructions;
pub mod processor;
pub mod state;

pub use error::DecodeError;
pub use state::CounterAccount;
pub use instructions::CounterInstructions;
pub use instructions::DecrementArgs;
pub use instructions::IncrementArgs;
pub use instructions::UpdateArgs;
