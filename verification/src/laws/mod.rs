//! What holds of the results of calls, whatever the arguments.
//!
//! `call_ensures(f, args, r)` says that `r` can come of the call of `f` on `args`. Each law here
//! takes what came of such calls, and says what it holds, or how the results of several calls
//! belong together.

pub mod course;
pub mod documents;
pub mod protocol;
pub mod screens;
pub mod terminal;
pub mod texts;
pub mod tools;
