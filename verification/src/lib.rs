//! A validated builder for `Character` values.
//!
//! A `Character` starts from fixed defaults, is reconfigured through chained,
//! ownership-transferring calls, and is checked only at the final `build`
//! step, which yields either the validated character or a descriptive error.

pub mod character;
pub mod text;
