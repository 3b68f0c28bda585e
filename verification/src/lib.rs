//! UTC timestamps for a desktop shell: a calendar reading of the system clock,
//! its RFC 3339 text with millisecond precision, and the start-up decisions of
//! the shell that serves it.

pub mod civil;
pub mod text;
pub mod clock;
pub mod startup;
