//! Stack walking over call-frame information.
//!
//! A [`Walker`] recovers, frame by frame, the registers of each caller of a
//! running thread. It looks the instruction pointer up in a table of address
//! ranges sorted by their start, decodes the rows of the frame descriptor that
//! covers it, and applies the register rules of the row that holds the
//! address.
//!
//! Every function of this crate is verified with Verus against the contract
//! that it carries, except the few that call the `gimli` decoder: those are
//! small, marked `external_body`, and say in their documentation what they
//! take on trust.

pub mod control;
pub mod decode;
pub mod entry;
pub mod error;
pub mod log;
pub mod operators;
pub mod options;
pub mod reader;
pub mod registers;
pub mod registers_unsupported;
pub mod registers_x86;
pub mod rules;
pub mod sort;
pub mod tagged_word;
pub mod text;
pub mod walker;

pub use control::{AsStackWalkControl, StackWalkControl};
pub use decode::EhFrameSection;
pub use entry::UnwindEntry;
pub use error::WalkError;
pub use options::Options;
pub use reader::MemoryReader;
pub use registers::{FrameRegisters, Registers};
pub use rules::{CfaRule, RegisterRule, UnwindTableRow};
pub use tagged_word::TaggedWord;
pub use walker::Walker;
