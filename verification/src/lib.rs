//! A verified library for an interactive number-guessing session: the
//! statistics aggregate with its derived ratios, the guess evaluator, the
//! command dispatcher, the persisted-record codec, and the error reporting
//! of the persistence gateway.

pub mod cmd;
pub mod files;
pub mod game;
pub mod record;
pub mod text;
