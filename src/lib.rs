pub mod chain;
pub mod changefeed;
pub mod command;
pub mod cursor;
pub mod datum;
pub mod entry;
pub mod frame;
pub mod laws;
pub mod options;
pub mod protocol;
pub mod session;
pub mod term_type;
pub mod terms;

pub use command::Command;
pub use datum::Datum;
pub use entry::r;
