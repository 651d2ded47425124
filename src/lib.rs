//! Validated ticket construction: a closed set of lifecycle states parsed from
//! text, and a ticket whose title, description and status are checked when it
//! is built, with errors that keep their cause. Beside it, a saturating `u16`
//! and integer powers.

pub mod power;
pub mod saturating;
pub mod status;
pub mod ticket;

pub use power::Power;
pub use saturating::SaturatingU16;
pub use status::{ParseStatusError, Status};
pub use ticket::{summary, Summary, Ticket, TicketNewError};
