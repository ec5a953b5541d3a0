//! What the operations are for, stated over what goes in and what comes out.
pub mod answers;
pub mod command_line;
pub mod node;
pub mod wallet;
