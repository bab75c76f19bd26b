use vstd::prelude::*;
use crate::key::Key;

verus! {

/// Bytes an initialized counter account occupies: an 8-byte discriminator, the
/// 8-byte count and the 32-byte authority.
pub const COUNTER_SPACE: usize = 8 + 8 + 32;

/// Why an instruction was refused. A refused instruction changes nothing.
#[derive(Clone, Copy, Debug, PartialEq, Eq, Structural)]
pub enum CounterError {
    /// The counter account is not at the address derived from the seed.
    AddressMismatch,
    /// `initialize` was asked to create a record that already exists.
    AlreadyInitialized,
    /// The counter account holds no record.
    RecordNotFound,
    /// A required signature is missing, or the signer is not the authority.
    Unauthorized,
    /// The payer cannot cover the rent-exemption minimum of the new account.
    FundingFailure,
    /// The count would leave the range of an `i64`.
    Overflow,
}

/// The record stored in the counter account.
#[derive(Clone, Copy, Debug)]
pub struct Counter {
    pub count: i64,
    pub authority: Key,
}

/// The counter account as the host hands it to an instruction: its address,
/// its balance, and the record it holds, if it has been initialized.
#[derive(Clone, Copy, Debug)]
pub struct CounterAccount {
    pub address: Key,
    pub lamports: u64,
    pub record: Option<Counter>,
}

/// An account that takes part in an instruction as an identity: its key,
/// whether the host verified its signature on the transaction, and its balance.
#[derive(Clone, Copy, Debug)]
pub struct Signer {
    pub key: Key,
    pub is_signer: bool,
    pub lamports: u64,
}

/// Accounts of `initialize`: the counter to create and the user who pays for
/// it and becomes its authority.
#[derive(Clone, Copy, Debug)]
pub struct Initialize {
    pub counter: CounterAccount,
    pub user: Signer,
}

/// Accounts of `increment`.
#[derive(Clone, Copy, Debug)]
pub struct Increment {
    pub counter: CounterAccount,
}

/// Accounts of `decrement`.
#[derive(Clone, Copy, Debug)]
pub struct Decrement {
    pub counter: CounterAccount,
}

/// Accounts of `reset`: the counter and the identity that claims to be its
/// authority.
#[derive(Clone, Copy, Debug)]
pub struct Reset {
    pub counter: CounterAccount,
    pub authority: Signer,
}

/// What an instruction runs against: the identifier of the program the
/// counter belongs to, and the instruction's accounts.
#[derive(Clone, Copy, Debug)]
pub struct Context<T> {
    pub program_id: Key,
    pub accounts: T,
}

} // verus!
