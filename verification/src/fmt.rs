//! Helpers that write the recurring pieces of a message.

pub mod code;
pub mod note;

pub use self::code::Code;
pub use self::note::Note;
