//! A payment stream: one record that drains a balance from a sender to a
//! receiver at a fixed rate per second, created by `Initialize` and settled
//! by `Terminate`.

pub mod codec;
pub mod processor;
pub mod state;

pub use processor::{process_instruction, process_instruction_at, Account};
pub use state::{Pubkey, StreamConfig, StreamError, StreamInstruction};
