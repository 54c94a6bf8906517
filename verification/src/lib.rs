//! A time-gated badge ledger.
//!
//! Every participant runs a recurring era, a fixed number of blocks. Once the
//! era has elapsed the participant may claim one badge, which also starts the
//! next era of the same length.
//!
//! [`profile`] holds the record of one participant and the rules on it,
//! [`ledger`] the collection of all records with its operations, and
//! [`theorems`] what holds of every ledger. The caller of an operation and the
//! current block are passed in: the library keeps no clock and knows no
//! caller of its own.

pub mod account;
pub mod ledger;
pub mod profile;
pub mod theorems;

pub use account::AccountId;
pub use ledger::Magink;
pub use profile::Error;
pub use profile::Profile;
