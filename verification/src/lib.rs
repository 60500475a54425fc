//! Execution core of an on-chain asset registry.
//!
//! A transaction hands the program a list of accounts and an instruction
//! payload. The library validates what each account is allowed to be, derives
//! the addresses of the records that the operation needs and compares the
//! supplied accounts with them, reads and writes the fixed-layout records, and
//! returns what the host has to carry out. It never changes an account of the
//! host itself: every handler is a function from the accounts as they are and
//! the payload to an ordered list of requests, or to one error of a closed
//! set. A failure therefore comes with no request at all.
//!
//! - [`errors`]: the failures and their numeric codes.
//! - [`account`]: addresses and accounts.
//! - [`pda`]: program-derived addresses.
//! - [`layout`], [`states`]: the byte layout of records and the records.
//! - [`utils`]: capability checks, typed access to records, the lifecycle of
//!   records, mints and token accounts.
//! - [`action`]: the requests to the host.
//! - [`instructions`], [`entrypoint`]: the operands, the handlers and the
//!   routing.
//!
//! Every function has a contract, and Verus proves each of them. What is not
//! proved is what the runtime's own crates compute: those calls stand in a
//! few small functions whose contracts say what is taken on trust.

pub mod account;
pub mod action;
pub mod entrypoint;
pub mod errors;
pub mod instructions;
pub mod layout;
pub mod pda;
pub mod states;
pub mod utils;
