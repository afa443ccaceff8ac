//! A small greeting library.
//!
//! The crate offers one entry point, [`example_function`], together with the
//! error type that its result can carry, the configuration record of the
//! command-line front end, and the plan of what one run logs and prints.

use vstd::prelude::*;

pub mod config;
pub mod error;
pub mod plan;

pub use crate::config::CliArgs;
pub use crate::config::Config;
pub use crate::error::Error;
pub use crate::plan::max_level;
pub use crate::plan::run;
pub use crate::plan::Level;
pub use crate::plan::LogLine;
pub use crate::plan::Report;

verus! {

/// The text that [`example_function`] returns.
pub open spec fn greeting() -> Seq<char> {
    "Hello, world!"@
}

/// Returns the greeting.
///
/// The call takes no input, has no side effect and never fails: the result is
/// always `Ok`, and the string in it is exactly `"Hello, world!"`.
pub fn example_function() -> (result: Result<String, Error>)
    ensures
        result is Ok,
        result->Ok_0@ == greeting(),
{
    Ok("Hello, world!".to_string())
}

} // verus!
