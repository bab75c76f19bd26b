use vstd::prelude::*;
use crate::address::{at_derived, counter_address, counter_address_of, is_derived_address, key_view};
use crate::host::{default_rent_minimum, rent_exempt_minimum};
use crate::key::Key;
use crate::state::{
    Context, Counter, CounterAccount, CounterError, Decrement, Increment, Initialize, Reset, Signer,
    COUNTER_SPACE,
};

verus! {

/// Lamports the payer adds to a counter account holding `lamports` so that it
/// reaches the rent-exemption minimum of a counter.
pub open spec fn funding_needed(lamports: u64) -> int {
    let minimum = rent_exempt_minimum(COUNTER_SPACE as nat);
    if lamports >= minimum {
        0
    } else {
        minimum - lamports
    }
}

/// The accounts after `initialize`, or the error it returns.
pub open spec fn initialize_outcome(a: Initialize, derived: Option<Seq<u8>>) -> Result<Initialize, CounterError> {
    if !at_derived(derived, a.counter.address) {
        Err(CounterError::AddressMismatch)
    } else if !a.user.is_signer {
        Err(CounterError::Unauthorized)
    } else if a.counter.record is Some {
        Err(CounterError::AlreadyInitialized)
    } else if a.user.lamports < funding_needed(a.counter.lamports) {
        Err(CounterError::FundingFailure)
    } else {
        let need = funding_needed(a.counter.lamports);
        Ok(Initialize {
            counter: CounterAccount {
                address: a.counter.address,
                lamports: (a.counter.lamports + need) as u64,
                record: Some(Counter { count: 0, authority: a.user.key }),
            },
            user: Signer {
                key: a.user.key,
                is_signer: a.user.is_signer,
                lamports: (a.user.lamports - need) as u64,
            },
        })
    }
}

/// The counter account after its count is moved by `delta`, or the error.
pub open spec fn adjust_outcome(c: CounterAccount, derived: Option<Seq<u8>>, delta: int) -> Result<CounterAccount, CounterError> {
    if !at_derived(derived, c.address) {
        Err(CounterError::AddressMismatch)
    } else {
        match c.record {
            None => Err(CounterError::RecordNotFound),
            Some(rec) => {
                let n = rec.count + delta;
                if n < i64::MIN || n > i64::MAX {
                    Err(CounterError::Overflow)
                } else {
                    Ok(CounterAccount {
                        address: c.address,
                        lamports: c.lamports,
                        record: Some(Counter { count: n as i64, authority: rec.authority }),
                    })
                }
            },
        }
    }
}

/// The accounts after `increment`, or the error it returns.
pub open spec fn increment_outcome(a: Increment, derived: Option<Seq<u8>>) -> Result<Increment, CounterError> {
    match adjust_outcome(a.counter, derived, 1) {
        Ok(c) => Ok(Increment { counter: c }),
        Err(e) => Err(e),
    }
}

/// The accounts after `decrement`, or the error it returns.
pub open spec fn decrement_outcome(a: Decrement, derived: Option<Seq<u8>>) -> Result<Decrement, CounterError> {
    match adjust_outcome(a.counter, derived, -1) {
        Ok(c) => Ok(Decrement { counter: c }),
        Err(e) => Err(e),
    }
}

/// Whether `s` signed and is the authority `authority`.
pub open spec fn signed_by(s: Signer, authority: Key) -> bool {
    s.is_signer && s.key@ == authority@
}

/// The accounts after `reset`, or the error it returns.
pub open spec fn reset_outcome(a: Reset, derived: Option<Seq<u8>>) -> Result<Reset, CounterError> {
    if !at_derived(derived, a.counter.address) {
        Err(CounterError::AddressMismatch)
    } else {
        match a.counter.record {
            None => Err(CounterError::RecordNotFound),
            Some(rec) => {
                if !signed_by(a.authority, rec.authority) {
                    Err(CounterError::Unauthorized)
                } else {
                    Ok(Reset {
                        counter: CounterAccount {
                            address: a.counter.address,
                            lamports: a.counter.lamports,
                            record: Some(Counter { count: 0, authority: rec.authority }),
                        },
                        authority: a.authority,
                    })
                }
            },
        }
    }
}

/// `r` and `post` are what an instruction with outcome `out` returns and
/// leaves: on success the new accounts, on error that error and `pre` as it was.
pub open spec fn outcome_holds<T>(r: Result<(), CounterError>, out: Result<T, CounterError>, pre: T, post: T) -> bool {
    match out {
        Ok(next) => r is Ok && post == next,
        Err(e) => r == Err::<(), CounterError>(e) && post == pre,
    }
}

/// Moves the count of `c` by one, up or down, at the derived address `derived`.
fn adjust(c: &mut CounterAccount, derived: Option<Key>, up: bool) -> (r: Result<(), CounterError>)
    ensures
        outcome_holds(
            r,
            adjust_outcome(*old(c), key_view(derived), if up { 1 } else { -1 }),
            *old(c),
            *final(c),
        ),
{
    if !is_derived_address(derived, &c.address) {
        return Err(CounterError::AddressMismatch);
    }
    match c.record {
        None => Err(CounterError::RecordNotFound),
        Some(rec) => {
            let next = if up {
                rec.count.checked_add(1)
            } else {
                rec.count.checked_sub(1)
            };
            match next {
                None => Err(CounterError::Overflow),
                Some(n) => {
                    c.record = Some(Counter { count: n, authority: rec.authority });
                    Ok(())
                },
            }
        },
    }
}

impl Initialize {
    /// Creates the counter record at the derived address `derived`: the user
    /// must have signed, the account must hold no record, and the user pays what
    /// the account lacks of the rent-exemption minimum. The count starts at zero
    /// and the user becomes the authority.
    pub fn process(&mut self, derived: Option<Key>) -> (r: Result<(), CounterError>)
        ensures
            outcome_holds(r, initialize_outcome(*old(self), key_view(derived)), *old(self), *final(self)),
    {
        if !is_derived_address(derived, &self.counter.address) {
            return Err(CounterError::AddressMismatch);
        }
        if !self.user.is_signer {
            return Err(CounterError::Unauthorized);
        }
        if self.counter.record.is_some() {
            return Err(CounterError::AlreadyInitialized);
        }
        let minimum = default_rent_minimum(COUNTER_SPACE);
        let need: u64 = if self.counter.lamports >= minimum {
            0
        } else {
            minimum - self.counter.lamports
        };
        if self.user.lamports < need {
            return Err(CounterError::FundingFailure);
        }
        self.user.lamports = self.user.lamports - need;
        self.counter.lamports = self.counter.lamports + need;
        self.counter.record = Some(Counter { count: 0, authority: self.user.key });
        Ok(())
    }
}

impl Increment {
    /// Adds one to the count of the record at the derived address `derived`.
    pub fn process(&mut self, derived: Option<Key>) -> (r: Result<(), CounterError>)
        ensures
            outcome_holds(r, increment_outcome(*old(self), key_view(derived)), *old(self), *final(self)),
    {
        adjust(&mut self.counter, derived, true)
    }
}

impl Decrement {
    /// Subtracts one from the count of the record at the derived address `derived`.
    pub fn process(&mut self, derived: Option<Key>) -> (r: Result<(), CounterError>)
        ensures
            outcome_holds(r, decrement_outcome(*old(self), key_view(derived)), *old(self), *final(self)),
    {
        adjust(&mut self.counter, derived, false)
    }
}

impl Reset {
    /// Sets the count of the record at the derived address `derived` to zero,
    /// where the record's authority signed.
    pub fn process(&mut self, derived: Option<Key>) -> (r: Result<(), CounterError>)
        ensures
            outcome_holds(r, reset_outcome(*old(self), key_view(derived)), *old(self), *final(self)),
    {
        if !is_derived_address(derived, &self.counter.address) {
            return Err(CounterError::AddressMismatch);
        }
        match self.counter.record {
            None => Err(CounterError::RecordNotFound),
            Some(rec) => {
                if !self.authority.is_signer || !(self.authority.key == rec.authority) {
                    return Err(CounterError::Unauthorized);
                }
                self.counter.record = Some(Counter { count: 0, authority: rec.authority });
                Ok(())
            },
        }
    }
}

/// Creates the counter of the program `ctx.program_id` at its derived
/// address, funded by and owned by `ctx.accounts.user`.
pub fn initialize(ctx: &mut Context<Initialize>) -> (r: Result<(), CounterError>)
    ensures
        final(ctx).program_id == old(ctx).program_id,
        outcome_holds(
            r,
            initialize_outcome(old(ctx).accounts, counter_address_of(old(ctx).program_id@)),
            old(ctx).accounts,
            final(ctx).accounts,
        ),
{
    let derived = counter_address(&ctx.program_id);
    ctx.accounts.process(derived)
}

/// Adds one to the count of the counter of the program `ctx.program_id`.
pub fn increment(ctx: &mut Context<Increment>) -> (r: Result<(), CounterError>)
    ensures
        final(ctx).program_id == old(ctx).program_id,
        outcome_holds(
            r,
            increment_outcome(old(ctx).accounts, counter_address_of(old(ctx).program_id@)),
            old(ctx).accounts,
            final(ctx).accounts,
        ),
{
    let derived = counter_address(&ctx.program_id);
    ctx.accounts.process(derived)
}

/// Subtracts one from the count of the counter of the program `ctx.program_id`.
pub fn decrement(ctx: &mut Context<Decrement>) -> (r: Result<(), CounterError>)
    ensures
        final(ctx).program_id == old(ctx).program_id,
        outcome_holds(
            r,
            decrement_outcome(old(ctx).accounts, counter_address_of(old(ctx).program_id@)),
            old(ctx).accounts,
            final(ctx).accounts,
        ),
{
    let derived = counter_address(&ctx.program_id);
    ctx.accounts.process(derived)
}

/// Sets the count of the counter of the program `ctx.program_id` to zero, on
/// the signature of its authority.
pub fn reset(ctx: &mut Context<Reset>) -> (r: Result<(), CounterError>)
    ensures
        final(ctx).program_id == old(ctx).program_id,
        outcome_holds(
            r,
            reset_outcome(old(ctx).accounts, counter_address_of(old(ctx).program_id@)),
            old(ctx).accounts,
            final(ctx).accounts,
        ),
{
    let derived = counter_address(&ctx.program_id);
    ctx.accounts.process(derived)
}

} // verus!
