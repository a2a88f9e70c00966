//! A validated ticket title: a UTF-8 string known to be non-empty and at most
//! 50 bytes long, together with the closed set of errors that a failed ticket
//! construction reports.

pub mod errors;
pub mod title;

pub use errors::ParseStatusError;
pub use errors::TicketNewError;
pub use title::TicketTitle;
