//! A line-oriented interpreter for two statement forms over an environment
//! of named numbers:
//!
//! ```text
//! variable <name> isequal to <value>
//! print <operand> <plus|minus|times|divided> <operand>
//! ```
//!
//! The crate holds the whole of the interpreter's decision logic: how a line
//! falls into tokens, which statement the tokens form, how operands are
//! resolved against the environment, and which reports a line gives rise to.
//! Numbers are carried as IEEE-754 binary64 bit patterns and are never
//! computed with here; reading a literal, applying an operator and printing
//! a number are left to the caller.
pub mod interpreter;
pub mod lexer;
pub mod report;
pub mod token;
pub mod views;
